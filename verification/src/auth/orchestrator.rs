//! Coordinates authentication flows, persistence, and token-refresh timing.
//! A session is returned to callers only after it has been persisted; the
//! network exchanges themselves happen outside the library, which decides
//! here when a refresh is due and how its result replaces the stored session.

use vstd::prelude::*;

use crate::auth::credential_store::CredentialStore;
use crate::auth::error::AuthError;
use crate::auth::oauth::{carry_refresh_token, OAuthClient, OAuthConfigView, OAuthEndpointsView};
use crate::auth::session::{AuthSession, SessionView, TokenType};
use crate::time::{Duration, Timestamp};

verus! {

/// What `ensure_fresh_plan` tells the caller to do for a loaded session.
pub enum FreshPlan {
    /// Nothing is stored: the caller is not logged in.
    NotLoggedIn,
    /// The stored session is usable as it is.
    Fresh(AuthSession),
    /// The stored session is a bearer token near expiry: refresh it, then
    /// hand the result to `absorb_refresh`.
    NeedsRefresh(AuthSession),
}

/// Coordinates authentication flows, persistence, and token refresh for one
/// named profile.
pub struct AuthManager<S: CredentialStore> {
    store: S,
    oauth: OAuthClient,
    profile: String,
    refresh_window: Duration,
}

impl<S: CredentialStore> AuthManager<S> {
    /// The stored sessions, for specifications.
    pub closed spec fn store_model(&self) -> Map<Seq<char>, SessionView> {
        self.store.model()
    }

    /// The profile this manager acts on, for specifications.
    pub closed spec fn profile_view(&self) -> Seq<char> {
        self.profile@
    }

    /// The refresh lead time in milliseconds, for specifications.
    pub closed spec fn window_view(&self) -> i64 {
        self.refresh_window.spec_millis()
    }

    /// The OAuth configuration in use, for specifications.
    pub closed spec fn oauth_config_view(&self) -> OAuthConfigView {
        self.oauth.config_view()
    }

    /// The OAuth endpoints in use, for specifications.
    pub closed spec fn oauth_endpoints_view(&self) -> OAuthEndpointsView {
        self.oauth.endpoints_view()
    }

    /// A manager over a store, an OAuth client and a profile name, with the
    /// default five-minute refresh window.
    pub fn new(store: S, oauth: OAuthClient, profile: String) -> (r: AuthManager<S>)
        ensures
            r.store_model() == store.model(),
            r.profile_view() == profile@,
            r.window_view() == 300_000i64,
            r.oauth_config_view() == oauth.config_view(),
            r.oauth_endpoints_view() == oauth.endpoints_view(),
    {
        AuthManager { store, oauth, profile, refresh_window: Duration::minutes(5) }
    }

    /// The same manager with another refresh window: smaller values refresh
    /// later, larger values refresh more eagerly.
    pub fn with_refresh_window(self, window: Duration) -> (r: AuthManager<S>)
        ensures
            r.store_model() == self.store_model(),
            r.profile_view() == self.profile_view(),
            r.window_view() == window.spec_millis(),
            r.oauth_config_view() == self.oauth_config_view(),
            r.oauth_endpoints_view() == self.oauth_endpoints_view(),
    {
        AuthManager { refresh_window: window, ..self }
    }

    /// The OAuth client, for building authorization URLs and exchange forms.
    pub fn oauth(&self) -> (r: &OAuthClient)
        ensures
            r.config_view() == self.oauth_config_view(),
            r.endpoints_view() == self.oauth_endpoints_view(),
    {
        &self.oauth
    }

    /// The profile this manager acts on.
    pub fn profile(&self) -> (r: &str)
        ensures
            r@ == self.profile_view(),
    {
        self.profile.as_str()
    }

    /// Read-only load of the stored session, with no refresh.
    pub fn current_session(&self) -> (r: Result<Option<AuthSession>, AuthError>)
        ensures
            r matches Ok(o) ==> match o {
                Some(s) => self.store_model().contains_key(self.profile_view()) && s@
                    == self.store_model()[self.profile_view()],
                None => !self.store_model().contains_key(self.profile_view()),
            },
    {
        self.store.load(self.profile.as_str())
    }

    /// Persist a session for this manager's profile, replacing any stored
    /// one.
    pub fn persist(&mut self, session: &AuthSession) -> (r: Result<(), AuthError>)
        ensures
            r is Ok ==> final(self).store_model() == old(self).store_model().insert(
                old(self).profile_view(),
                session@,
            ),
            final(self).profile_view() == old(self).profile_view(),
            final(self).window_view() == old(self).window_view(),
            final(self).oauth_config_view() == old(self).oauth_config_view(),
            final(self).oauth_endpoints_view() == old(self).oauth_endpoints_view(),
    {
        self.store.save(self.profile.as_str(), session)
    }

    /// Construct an API-key session and persist it; no network call is made.
    /// The session is returned only after the save succeeded.
    pub fn authenticate_api_key(&mut self, key: String) -> (r: Result<AuthSession, AuthError>)
        ensures
            r matches Ok(s) ==> {
                &&& s@.access_token == key@
                &&& s@.token_type == TokenType::ApiKey
                &&& s@.refresh_token is None
                &&& s@.expires_at is None
                &&& s@.wf()
                &&& final(self).store_model() == old(self).store_model().insert(
                    old(self).profile_view(),
                    s@,
                )
            },
            final(self).profile_view() == old(self).profile_view(),
            final(self).window_view() == old(self).window_view(),
            final(self).oauth_config_view() == old(self).oauth_config_view(),
            final(self).oauth_endpoints_view() == old(self).oauth_endpoints_view(),
    {
        let session = AuthSession::new_api_key(key);
        match self.persist(&session) {
            Ok(()) => Ok(session),
            Err(e) => Err(e),
        }
    }

    /// Delete the stored session. Logging out a profile with nothing stored
    /// succeeds too.
    pub fn logout(&mut self) -> (r: Result<(), AuthError>)
        ensures
            r is Ok ==> final(self).store_model() == old(self).store_model().remove(
                old(self).profile_view(),
            ),
            final(self).profile_view() == old(self).profile_view(),
            final(self).window_view() == old(self).window_view(),
            final(self).oauth_config_view() == old(self).oauth_config_view(),
            final(self).oauth_endpoints_view() == old(self).oauth_endpoints_view(),
    {
        self.store.delete(self.profile.as_str())
    }

    /// True when the stored session must be refreshed before use at instant
    /// `now`: it is a bearer session that expires within the refresh window.
    pub fn needs_refresh(&self, session: &AuthSession, now: Timestamp) -> (r: bool)
        ensures
            r == (session@.token_type == TokenType::Bearer && session@.expires_within(
                self.window_view(),
                now.spec_millis(),
            )),
    {
        matches!(session.token_type, TokenType::Bearer) && session.will_expire_within_at(
            self.refresh_window,
            now,
        )
    }

    /// Load the stored session and decide what to do with it at instant
    /// `now`: nothing stored means not logged in; a bearer session near
    /// expiry must be refreshed; anything else (an API key, or a bearer
    /// token not near expiry) is returned unchanged.
    pub fn ensure_fresh_plan(&self, now: Timestamp) -> (r: Result<FreshPlan, AuthError>)
        ensures
            r matches Ok(plan) ==> match plan {
                FreshPlan::NotLoggedIn => !self.store_model().contains_key(self.profile_view()),
                FreshPlan::Fresh(s) => {
                    &&& self.store_model().contains_key(self.profile_view())
                    &&& s@ == self.store_model()[self.profile_view()]
                    &&& !(s@.token_type == TokenType::Bearer && s@.expires_within(
                        self.window_view(),
                        now.spec_millis(),
                    ))
                },
                FreshPlan::NeedsRefresh(s) => {
                    &&& self.store_model().contains_key(self.profile_view())
                    &&& s@ == self.store_model()[self.profile_view()]
                    &&& s@.token_type == TokenType::Bearer
                    &&& s@.expires_within(self.window_view(), now.spec_millis())
                },
            },
    {
        match self.current_session() {
            Err(e) => Err(e),
            Ok(None) => Ok(FreshPlan::NotLoggedIn),
            Ok(Some(session)) => {
                if self.needs_refresh(&session, now) {
                    Ok(FreshPlan::NeedsRefresh(session))
                } else {
                    Ok(FreshPlan::Fresh(session))
                }
            },
        }
    }

    /// Take the session a refresh produced, carry the previous refresh token
    /// forward when the server omitted one, persist the result, and return
    /// it. The returned session is exactly what was stored.
    pub fn absorb_refresh(&mut self, previous: &AuthSession, refreshed: AuthSession) -> (r: Result<
        AuthSession,
        AuthError,
    >)
        ensures
            r matches Ok(s) ==> {
                &&& s@ == (if refreshed@.refresh_token is Some {
                    refreshed@
                } else {
                    SessionView { refresh_token: previous@.refresh_token, ..refreshed@ }
                })
                &&& final(self).store_model() == old(self).store_model().insert(
                    old(self).profile_view(),
                    s@,
                )
            },
            final(self).profile_view() == old(self).profile_view(),
            final(self).window_view() == old(self).window_view(),
            final(self).oauth_config_view() == old(self).oauth_config_view(),
            final(self).oauth_endpoints_view() == old(self).oauth_endpoints_view(),
    {
        let merged = carry_refresh_token(previous, refreshed);
        match self.persist(&merged) {
            Ok(()) => Ok(merged),
            Err(e) => Err(e),
        }
    }
}

} // verus!
