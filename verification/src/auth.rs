//! The authentication subsystem: PKCE material, sessions, flows, the OAuth
//! client, persistence, and the orchestrating manager.

pub mod browser;
pub mod credential_store;
pub mod envelope;
pub mod error;
pub mod flow;
pub mod manual;
pub mod oauth;
pub mod orchestrator;
pub mod pkce;
pub mod session;
pub mod urlenc;
pub mod utils;

pub use credential_store::{CredentialStore, FileCredentialStore, MemoryCredentialStore};
pub use error::AuthError;
pub use flow::{AuthFlow, FlowPreference, InvalidFlow};
pub use oauth::{OAuthClient, OAuthConfig, OAuthEndpoints, TokenExchangeResult};
pub use orchestrator::{AuthManager, FreshPlan};
pub use pkce::PkcePair;
pub use session::{AuthSession, TokenType};
