//! Process-wide configuration.

use vstd::prelude::*;

verus! {

/// What the service is configured with at startup. It is built once and
/// handed by reference to every component; nothing re-reads it per request.
#[derive(Debug, Clone, PartialEq, Eq)]
pub struct Config {
    /// The shared secret that first-party tokens are signed with.
    pub key: String,
    /// The audience that the provider's assertions must be made out to.
    pub google_oauth_audience: String,
    /// Where the provider publishes its key set.
    pub google_oauth_jwks_endpoint: String,
    /// How long a first-party token is valid from its issue, in seconds.
    pub access_token_ttl: i64,
}

/// The mathematical value of a [`Config`].
pub struct ConfigView {
    pub key: Seq<char>,
    pub google_oauth_audience: Seq<char>,
    pub google_oauth_jwks_endpoint: Seq<char>,
    pub access_token_ttl: int,
}

impl View for Config {
    type V = ConfigView;

    open spec fn view(&self) -> ConfigView {
        ConfigView {
            key: self.key@,
            google_oauth_audience: self.google_oauth_audience@,
            google_oauth_jwks_endpoint: self.google_oauth_jwks_endpoint@,
            access_token_ttl: self.access_token_ttl as int,
        }
    }
}

impl Config {
    /// A configuration of the four given settings.
    pub fn new(
        key: String,
        google_oauth_audience: String,
        google_oauth_jwks_endpoint: String,
        access_token_ttl: i64,
    ) -> (config: Config)
        ensures
            config@ == (ConfigView {
                key: key@,
                google_oauth_audience: google_oauth_audience@,
                google_oauth_jwks_endpoint: google_oauth_jwks_endpoint@,
                access_token_ttl: access_token_ttl as int,
            }),
    {
        Config { key, google_oauth_audience, google_oauth_jwks_endpoint, access_token_ttl }
    }
}

} // verus!
