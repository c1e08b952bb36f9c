//! Authentication and credential-lifecycle core for a Linear-style issue
//! tracker CLI: PKCE generation, OAuth token exchange bookkeeping, flow
//! selection, session persistence, and token-refresh timing.

pub mod auth;
pub mod config;
pub mod graphql;
pub mod services;
pub mod strutil;
pub mod time;
