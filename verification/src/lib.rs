//! Token lifecycle and session authentication for a service that signs its
//! users in through an OAuth2 identity provider.
//!
//! The crate mints and checks first-party session tokens, validates the
//! provider's identity assertions against its published key set, decides
//! when an expired session is refreshed, and runs the per-request guard
//! that turns a cookie session or a bearer header into an identity.

pub mod bearer;
pub mod claims;
pub mod clock;
pub mod codec;
pub mod config;
pub mod error;
pub mod guard;
pub mod issuer;
pub mod json;
pub mod jwt;
pub mod keys;
pub mod login;
pub mod paging;
pub mod profile;
pub mod provider;
pub mod refresh;
pub mod routes;
pub mod session;
pub mod text;
pub mod tokens;
